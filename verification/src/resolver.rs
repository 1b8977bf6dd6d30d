//! Edge-triggered hover transitions: comparing the cell resolved this tick
//! against the previous tick's cell, emitting `Left` / `Entered` events, and
//! keeping the one-cell hover memory up to date.

use vstd::prelude::*;

use crate::grid::CellCoord;
use crate::grid::GridModel;
use crate::grid::GridSpec;
use crate::grid::WorldPoint;
use crate::grid::resolved_cell;

verus! {

/// A hover transition: the pointer left a cell, or entered one. Produced
/// and consumed within a single tick; at most one of each per tick.
#[derive(Clone, Copy, Debug, PartialEq, Eq, Structural)]
pub enum HoverTransitionEvent {
    /// The pointer is no longer over this cell.
    Left(CellCoord),
    /// The pointer is now over this cell.
    Entered(CellCoord),
}

/// The resolver's only memory between ticks: the last resolved valid cell,
/// or `None` when the pointer was absent or out of bounds last tick.
pub struct HoverState {
    pub previous_cell: Option<CellCoord>,
}

/// The cell the pointer is over this tick: `None` when no world position
/// is available, otherwise whatever the grid resolves the point to.
pub open spec fn current_cell(m: GridModel, pointer_world: Option<WorldPoint>) -> Option<
    CellCoord,
> {
    match pointer_world {
        Some(p) => resolved_cell(m, p.x as int, p.y as int),
        None => None,
    }
}

/// The events one tick emits, in emission order, given the previous and
/// the currently resolved cell. A `Left` for the old cell always stands
/// strictly before an `Entered` for the new one; nothing is emitted while
/// the resolved cell is unchanged, nor while the pointer stays away.
pub open spec fn transition_events(prev: Option<CellCoord>, cur: Option<CellCoord>) -> Seq<
    HoverTransitionEvent,
> {
    let changed = prev is Some && cur is Some && prev != cur;
    let lefts: Seq<HoverTransitionEvent> = if prev is Some && (changed || cur is None) {
        seq![HoverTransitionEvent::Left(prev->0)]
    } else {
        Seq::empty()
    };
    let entereds: Seq<HoverTransitionEvent> = if cur is Some && (changed || prev is None) {
        seq![HoverTransitionEvent::Entered(cur->0)]
    } else {
        Seq::empty()
    };
    lefts + entereds
}

impl HoverState {
    /// The hover memory starts empty: no cell was hovered before the first
    /// tick.
    pub fn new() -> (r: HoverState)
        ensures
            r.previous_cell is None,
    {
        HoverState { previous_cell: None }
    }

    /// The cell currently under the pointer, as of the last tick: the
    /// host-visible answer to "what cell is hovered right now".
    pub fn current_hovered(&self) -> (r: Option<CellCoord>)
        ensures
            r == self.previous_cell,
    {
        self.previous_cell
    }
}

/// Emits this tick's transition events and advances the hover memory.
///
/// `pointer_world` is the pointer's world-space position, or `None` when
/// there is nothing to resolve this tick (pointer absent, or the host
/// could not invert the camera projection). The returned vector holds the
/// events in emission order; the hover memory always becomes the currently
/// resolved cell.
pub fn resolver_tick(
    grid: &GridSpec,
    pointer_world: Option<WorldPoint>,
    state: &mut HoverState,
) -> (events: Vec<HoverTransitionEvent>)
    ensures
        final(state).previous_cell == current_cell(grid@, pointer_world),
        events@ == transition_events(
            old(state).previous_cell,
            current_cell(grid@, pointer_world),
        ),
{
    let current: Option<CellCoord> = match pointer_world {
        Some(p) => grid.resolve_cell(p),
        None => None,
    };
    let events = compute_transitions(state.previous_cell, current);
    state.previous_cell = current;
    events
}

/// The transition step alone: events for one tick, given the previous and
/// the currently resolved cell, in emission order.
pub fn compute_transitions(prev: Option<CellCoord>, cur: Option<CellCoord>) -> (events: Vec<
    HoverTransitionEvent,
>)
    ensures
        events@ == transition_events(prev, cur),
{
    let mut events: Vec<HoverTransitionEvent> = Vec::new();
    let changed = match (prev, cur) {
        (Some(p), Some(c)) => p.x != c.x || p.y != c.y,
        _ => false,
    };
    if let Some(p) = prev {
        if changed || cur.is_none() {
            events.push(HoverTransitionEvent::Left(p));
        }
    }
    if let Some(c) = cur {
        if changed || prev.is_none() {
            events.push(HoverTransitionEvent::Entered(c));
        }
    }
    proof {
        assert(events@ =~= transition_events(prev, cur));
    }
    events
}

/// One tick's outcome, as the tick contract pins it: the resolved cell,
/// the emitted events, and the new hover memory.
pub open spec fn tick_outcome(
    m: GridModel,
    pointer_world: Option<WorldPoint>,
    prev: Option<CellCoord>,
    cur: Option<CellCoord>,
    events: Seq<HoverTransitionEvent>,
    new_prev: Option<CellCoord>,
) -> bool {
    &&& cur == current_cell(m, pointer_world)
    &&& events == transition_events(prev, cur)
    &&& new_prev == cur
}

/// Determinism: for fixed grid, pointer position and previous cell, any
/// two outcomes that satisfy the tick contract are the same triple, so
/// repeated invocations on the same inputs resolve identically.
pub proof fn lemma_resolution_deterministic(
    m: GridModel,
    pointer_world: Option<WorldPoint>,
    prev: Option<CellCoord>,
    cur1: Option<CellCoord>,
    events1: Seq<HoverTransitionEvent>,
    new_prev1: Option<CellCoord>,
    cur2: Option<CellCoord>,
    events2: Seq<HoverTransitionEvent>,
    new_prev2: Option<CellCoord>,
)
    requires
        tick_outcome(m, pointer_world, prev, cur1, events1, new_prev1),
        tick_outcome(m, pointer_world, prev, cur2, events2, new_prev2),
    ensures
        cur1 == cur2,
        events1 == events2,
        new_prev1 == new_prev2,
{
}

/// The total event sequence of `n` consecutive ticks that all resolve to
/// the same cell `cur`, starting from hover memory `prev`. After the
/// first tick the memory is `cur`, so every later tick compares `cur`
/// against itself.
pub open spec fn repeated_tick_events(
    prev: Option<CellCoord>,
    cur: Option<CellCoord>,
    n: nat,
) -> Seq<HoverTransitionEvent>
    decreases n,
{
    if n == 0 {
        Seq::empty()
    } else {
        transition_events(prev, cur) + repeated_tick_events(cur, cur, (n - 1) as nat)
    }
}

/// Edge-triggering: holding the pointer over one valid cell for any
/// positive number of consecutive ticks, starting with nothing hovered,
/// emits exactly one `Entered` for that cell on the first tick and
/// nothing afterwards.
pub proof fn lemma_edge_triggered(c: CellCoord, n: nat)
    requires
        n >= 1,
    ensures
        repeated_tick_events(None, Some(c), n) == seq![HoverTransitionEvent::Entered(c)],
    decreases n,
{
    if n == 1 {
        assert(repeated_tick_events(Some(c), Some(c), 0nat) == Seq::<
            HoverTransitionEvent,
        >::empty());
        assert(repeated_tick_events(None, Some(c), 1nat) =~= seq![
            HoverTransitionEvent::Entered(c),
        ]);
    } else {
        lemma_steady_quiescent(c, (n - 1) as nat);
        assert(repeated_tick_events(None, Some(c), n) =~= seq![
            HoverTransitionEvent::Entered(c),
        ]);
    }
}

/// Idempotent steady state: once the hover memory already holds the cell
/// the pointer keeps resolving to, any number of further ticks emits no
/// event at all, and the memory never changes.
pub proof fn lemma_steady_quiescent(c: CellCoord, n: nat)
    ensures
        repeated_tick_events(Some(c), Some(c), n) == Seq::<HoverTransitionEvent>::empty(),
    decreases n,
{
    if n > 0 {
        lemma_steady_quiescent(c, (n - 1) as nat);
        assert(repeated_tick_events(Some(c), Some(c), n) =~= Seq::<
            HoverTransitionEvent,
        >::empty());
    }
}

/// Ordering on a jump: when the pointer moves from one valid cell
/// straight to a different valid cell in a single tick, the tick emits
/// exactly `Left` of the old cell immediately followed by `Entered` of
/// the new one, never the reverse order.
pub proof fn lemma_jump_ordering(p: CellCoord, q: CellCoord)
    requires
        p != q,
    ensures
        transition_events(Some(p), Some(q)) == seq![
            HoverTransitionEvent::Left(p),
            HoverTransitionEvent::Entered(q),
        ],
{
    assert(transition_events(Some(p), Some(q)) =~= seq![
        HoverTransitionEvent::Left(p),
        HoverTransitionEvent::Entered(q),
    ]);
}

/// Pointer-absence symmetry: when a valid cell was hovered and the
/// pointer then goes away, the tick emits exactly `Left` of that cell and
/// no `Entered`; the tick contract makes the hover memory `None`.
pub proof fn lemma_pointer_absent(p: CellCoord)
    ensures
        transition_events(Some(p), None) == seq![HoverTransitionEvent::Left(p)],
{
    assert(transition_events(Some(p), None) =~= seq![HoverTransitionEvent::Left(p)]);
}

/// A tick emits at most one `Left` and at most one `Entered`: never more
/// than two events, and two only on a direct jump between two different
/// valid cells, in the order `Left` then `Entered`.
pub proof fn lemma_at_most_two_events(prev: Option<CellCoord>, cur: Option<CellCoord>)
    ensures
        transition_events(prev, cur).len() <= 2,
        transition_events(prev, cur).len() == 2 ==> (prev is Some && cur is Some && prev != cur
            && transition_events(prev, cur) == seq![
            HoverTransitionEvent::Left(prev->0),
            HoverTransitionEvent::Entered(cur->0),
        ]),
{
}

} // verus!
