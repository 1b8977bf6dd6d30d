// Tick-by-tick transition behaviour: edge-triggering, event ordering on a
// jump, pointer absence, and determinism. World coordinates are in
// thousandths of a world unit over an 8 x 8 grid of 8.0-unit cells, so the
// centre of cell (n, n) is at (8000 * n + 4000) on each axis.

use grid_hover::grid::CellCoord;
use grid_hover::grid::GridSpec;
use grid_hover::grid::WorldPoint;
use grid_hover::resolver::resolver_tick;
use grid_hover::resolver::HoverState;
use grid_hover::resolver::HoverTransitionEvent;

fn demo_grid() -> GridSpec {
    GridSpec::new(8000, 8000, 8, 8, 0, 0).unwrap()
}

fn over_cell(n: u32, m: u32) -> Option<WorldPoint> {
    Some(WorldPoint {
        x: 8000 * (n as i64) + 4000,
        y: 8000 * (m as i64) + 4000,
    })
}

#[test]
fn edge_triggered_single_entered() {
    // Holding the pointer over one cell for many ticks emits exactly one
    // Entered, on the first tick, and nothing afterwards.
    let g = demo_grid();
    let mut state = HoverState::new();
    let events = resolver_tick(&g, over_cell(3, 3), &mut state);
    assert_eq!(
        events,
        vec![HoverTransitionEvent::Entered(CellCoord { x: 3, y: 3 })]
    );
    for _ in 0..10 {
        let events = resolver_tick(&g, over_cell(3, 3), &mut state);
        assert!(events.is_empty());
        assert_eq!(state.current_hovered(), Some(CellCoord { x: 3, y: 3 }));
    }
}

#[test]
fn jump_emits_left_then_entered() {
    // Moving straight from cell (2,2) to cell (5,5) in one tick emits
    // Left((2,2)) immediately followed by Entered((5,5)), never reversed.
    let g = demo_grid();
    let mut state = HoverState::new();
    resolver_tick(&g, over_cell(2, 2), &mut state);
    let events = resolver_tick(&g, over_cell(5, 5), &mut state);
    assert_eq!(
        events,
        vec![
            HoverTransitionEvent::Left(CellCoord { x: 2, y: 2 }),
            HoverTransitionEvent::Entered(CellCoord { x: 5, y: 5 }),
        ]
    );
}

#[test]
fn pointer_absence_emits_left_only() {
    // Valid at (3,3) on tick 1, absent on tick 2: tick 2 emits exactly
    // Left((3,3)) and the hover memory becomes none.
    let g = demo_grid();
    let mut state = HoverState::new();
    resolver_tick(&g, over_cell(3, 3), &mut state);
    let events = resolver_tick(&g, None, &mut state);
    assert_eq!(
        events,
        vec![HoverTransitionEvent::Left(CellCoord { x: 3, y: 3 })]
    );
    assert_eq!(state.current_hovered(), None);
}

#[test]
fn out_of_bounds_acts_like_absence() {
    // A pointer that is present but outside the grid ends the hover the
    // same way absence does.
    let g = demo_grid();
    let mut state = HoverState::new();
    resolver_tick(&g, over_cell(7, 7), &mut state);
    let events = resolver_tick(&g, Some(WorldPoint { x: 64001, y: 4000 }), &mut state);
    assert_eq!(
        events,
        vec![HoverTransitionEvent::Left(CellCoord { x: 7, y: 7 })]
    );
    assert_eq!(state.current_hovered(), None);
}

#[test]
fn absent_stays_quiet() {
    // No pointer across many ticks: no events at all.
    let g = demo_grid();
    let mut state = HoverState::new();
    for _ in 0..5 {
        let events = resolver_tick(&g, None, &mut state);
        assert!(events.is_empty());
        assert_eq!(state.current_hovered(), None);
    }
}

#[test]
fn reentry_after_absence_triggers_again() {
    let g = demo_grid();
    let mut state = HoverState::new();
    resolver_tick(&g, over_cell(1, 6), &mut state);
    resolver_tick(&g, None, &mut state);
    let events = resolver_tick(&g, over_cell(1, 6), &mut state);
    assert_eq!(
        events,
        vec![HoverTransitionEvent::Entered(CellCoord { x: 1, y: 6 })]
    );
}

#[test]
fn resolution_is_deterministic() {
    // For fixed grid, pointer position and previous cell, repeated runs
    // produce identical events and identical new state.
    let g = demo_grid();
    let mut state_a = HoverState::new();
    let mut state_b = HoverState::new();
    let script = [
        over_cell(2, 2),
        over_cell(2, 2),
        over_cell(5, 5),
        None,
        over_cell(0, 7),
        Some(WorldPoint { x: -1, y: 12000 }),
    ];
    for pointer in script {
        let ev_a = resolver_tick(&g, pointer, &mut state_a);
        let ev_b = resolver_tick(&g, pointer, &mut state_b);
        assert_eq!(ev_a, ev_b);
        assert_eq!(state_a.current_hovered(), state_b.current_hovered());
    }
}
