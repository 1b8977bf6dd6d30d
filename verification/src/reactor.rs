//! Consumers of the hover transition stream: the highlight display state,
//! and the painter subscriber that turns `Entered` events into paint
//! commands in painter mode.

use vstd::prelude::*;

use crate::grid::CellCoord;
use crate::resolver::transition_events;
use crate::resolver::HoverTransitionEvent;

verus! {

/// The state that drives the hover highlight marker: whether it is shown,
/// and over which cell. `position` is meaningful only while `visible`.
#[derive(Clone, Copy, Debug, PartialEq, Eq, Structural)]
pub struct HighlightDisplayState {
    pub visible: bool,
    pub position: CellCoord,
}

/// What one event does to the highlight: `Left` hides it, `Entered` moves
/// it to the entered cell and shows it.
pub open spec fn highlight_after_event(
    s: HighlightDisplayState,
    e: HoverTransitionEvent,
) -> HighlightDisplayState {
    match e {
        HoverTransitionEvent::Left(_) => HighlightDisplayState {
            visible: false,
            position: s.position,
        },
        HoverTransitionEvent::Entered(p) => HighlightDisplayState { visible: true, position: p },
    }
}

/// The highlight state after processing a whole tick's events in emission
/// order.
pub open spec fn highlight_after_events(
    s: HighlightDisplayState,
    events: Seq<HoverTransitionEvent>,
) -> HighlightDisplayState
    decreases events.len(),
{
    if events.len() == 0 {
        s
    } else {
        highlight_after_events(highlight_after_event(s, events[0]), events.drop_first())
    }
}

impl HighlightDisplayState {
    /// Before the first event the highlight is hidden, parked over cell
    /// (0, 0).
    pub fn new() -> (r: HighlightDisplayState)
        ensures
            !r.visible,
            r.position == (CellCoord { x: 0, y: 0 }),
    {
        HighlightDisplayState { visible: false, position: CellCoord { x: 0, y: 0 } }
    }

    /// Applies one transition event to the highlight.
    pub fn apply_event(&mut self, e: &HoverTransitionEvent)
        ensures
            *final(self) == highlight_after_event(*old(self), *e),
    {
        match e {
            HoverTransitionEvent::Left(_) => {
                self.visible = false;
            },
            HoverTransitionEvent::Entered(p) => {
                self.position = *p;
                self.visible = true;
            },
        }
    }

    /// Applies a tick's events in emission order.
    pub fn apply_events(&mut self, events: &Vec<HoverTransitionEvent>)
        ensures
            *final(self) == highlight_after_events(*old(self), events@),
    {
        let ghost s0 = *self;
        let mut i: usize = 0;
        while i < events.len()
            invariant
                i <= events.len(),
                *self == highlight_after_events(s0, events@.take(i as int)),
            decreases events.len() - i,
        {
            proof {
                lemma_highlight_after_events_snoc(s0, events@.take(i as int), events@[i as int]);
                assert(events@.take(i as int).push(events@[i as int]) =~= events@.take(
                    i as int + 1,
                ));
            }
            self.apply_event(&events[i]);
            i = i + 1;
        }
        proof {
            assert(events@.take(events@.len() as int) =~= events@);
        }
    }
}

/// Processing one more event is the same as processing the prefix and
/// then that event: the fold over a tick's events goes left to right.
pub proof fn lemma_highlight_after_events_snoc(
    s: HighlightDisplayState,
    events: Seq<HoverTransitionEvent>,
    e: HoverTransitionEvent,
)
    ensures
        highlight_after_events(s, events.push(e)) == highlight_after_event(
            highlight_after_events(s, events),
            e,
        ),
    decreases events.len(),
{
    if events.len() == 0 {
        assert(events.push(e)[0] == e);
        assert(events.push(e).drop_first() =~= Seq::<HoverTransitionEvent>::empty());
        assert(highlight_after_events(s, events.push(e)) == highlight_after_events(
            highlight_after_event(s, e),
            Seq::<HoverTransitionEvent>::empty(),
        ));
    } else {
        assert(events.push(e)[0] == events[0]);
        assert(events.push(e).drop_first() =~= events.drop_first().push(e));
        lemma_highlight_after_events_snoc(
            highlight_after_event(s, events[0]),
            events.drop_first(),
            e,
        );
        assert(highlight_after_events(s, events.push(e)) == highlight_after_events(
            highlight_after_event(s, events[0]),
            events.drop_first().push(e),
        ));
    }
}

/// Reactor consistency: a tick that emits `Left(p)` and then `Entered(q)`
/// settles with the highlight visible over `q`; the transient hidden
/// state between the two events is not the end state.
pub proof fn lemma_jump_settles_visible(s: HighlightDisplayState, p: CellCoord, q: CellCoord)
    ensures
        highlight_after_events(
            s,
            seq![HoverTransitionEvent::Left(p), HoverTransitionEvent::Entered(q)],
        ) == (HighlightDisplayState { visible: true, position: q }),
{
    let events = seq![HoverTransitionEvent::Left(p), HoverTransitionEvent::Entered(q)];
    let s1 = highlight_after_event(s, events[0]);
    let rest = events.drop_first();
    assert(events[0] == HoverTransitionEvent::Left(p));
    assert(rest.len() == 1 && rest[0] == HoverTransitionEvent::Entered(q));
    assert(rest.drop_first() =~= Seq::<HoverTransitionEvent>::empty());
    let s2 = highlight_after_event(s1, rest[0]);
    assert(highlight_after_events(s2, rest.drop_first()) == s2);
    assert(highlight_after_events(s1, rest) == s2);
    assert(highlight_after_events(s, events) == s2);
    assert(s2 == (HighlightDisplayState { visible: true, position: q }));
}

/// The highlight tracks the resolver: whatever one tick emits, the settled
/// highlight state shows the currently resolved cell when there is one and
/// it changed, is untouched while the resolved cell is unchanged, and is
/// hidden once a hovered cell is no longer resolved.
pub proof fn lemma_highlight_tracks_current(
    d: HighlightDisplayState,
    prev: Option<CellCoord>,
    cur: Option<CellCoord>,
)
    ensures
        cur is Some && prev != cur ==> highlight_after_events(d, transition_events(prev, cur))
            == (HighlightDisplayState { visible: true, position: cur->0 }),
        cur == prev ==> highlight_after_events(d, transition_events(prev, cur)) == d,
        cur is None && prev is Some ==> highlight_after_events(d, transition_events(prev, cur))
            == (HighlightDisplayState { visible: false, position: d.position }),
{
    let events = transition_events(prev, cur);
    if cur == prev {
        assert(events =~= Seq::<HoverTransitionEvent>::empty());
    } else if cur is Some && prev is Some {
        lemma_jump_settles_visible(d, prev->0, cur->0);
        assert(events =~= seq![
            HoverTransitionEvent::Left(prev->0),
            HoverTransitionEvent::Entered(cur->0),
        ]);
    } else if cur is Some {
        assert(events =~= seq![HoverTransitionEvent::Entered(cur->0)]);
        let d1 = highlight_after_event(d, events[0]);
        assert(events.drop_first() =~= Seq::<HoverTransitionEvent>::empty());
        assert(highlight_after_events(d1, events.drop_first()) == d1);
        assert(highlight_after_events(d, events) == d1);
    } else if prev is Some {
        assert(events =~= seq![HoverTransitionEvent::Left(prev->0)]);
        let d1 = highlight_after_event(d, events[0]);
        assert(events.drop_first() =~= Seq::<HoverTransitionEvent>::empty());
        assert(highlight_after_events(d1, events.drop_first()) == d1);
        assert(highlight_after_events(d, events) == d1);
    }
}

/// The painter-mode subscriber: a second, independent consumer of the
/// transition stream. It reacts only to `Entered` events, and only while
/// enabled; its lifecycle is separate from the highlight's.
#[derive(Clone, Copy, Debug, PartialEq, Eq, Structural)]
pub struct PainterState {
    /// Whether painter mode is active.
    pub enabled: bool,
    /// The palette selection to apply, as the host UI's palette index.
    pub active_block: u32,
}

/// A request to apply one palette block to one cell, handed back to the
/// host for the tile store to execute.
#[derive(Clone, Copy, Debug, PartialEq, Eq, Structural)]
pub struct PaintCommand {
    pub cell: CellCoord,
    pub block: u32,
}

/// The paint command one event provokes: `Entered(p)` while enabled paints
/// the active block onto `p`; everything else paints nothing.
pub open spec fn paint_for_event(s: PainterState, e: HoverTransitionEvent) -> Option<
    PaintCommand,
> {
    match e {
        HoverTransitionEvent::Entered(p) => if s.enabled {
            Some(PaintCommand { cell: p, block: s.active_block })
        } else {
            None
        },
        HoverTransitionEvent::Left(_) => None,
    }
}

impl PainterState {
    /// Painter mode starts disabled, with the first palette entry
    /// selected.
    pub fn new() -> (r: PainterState)
        ensures
            !r.enabled,
            r.active_block == 0,
    {
        PainterState { enabled: false, active_block: 0 }
    }

    /// The paint command this event provokes, if any.
    pub fn react(&self, e: &HoverTransitionEvent) -> (r: Option<PaintCommand>)
        ensures
            r == paint_for_event(*self, *e),
    {
        match e {
            HoverTransitionEvent::Entered(p) => if self.enabled {
                Some(PaintCommand { cell: *p, block: self.active_block })
            } else {
                None
            },
            HoverTransitionEvent::Left(_) => None,
        }
    }
}

} // verus!
