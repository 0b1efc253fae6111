//! The tile-picking side: the movement-UI toggle, the hover-indicator
//! lifecycle, and the tile-picking mover.
//!
//! The host drives these once per tick, in order: toggle handling, the hover
//! lifecycle, the cleanup sweep, then movement. It hands in the toggle key's
//! edge this tick, the tile currently under the pointer (the picking query),
//! and the picking events raised this tick; [`tick`] bundles the four passes.
//!
//! The hover-indicator lifecycle comes in two backing strategies behind the
//! one interface, selected by [`HoverStrategy`]. Under the continuous-poll
//! strategy ([`movement_ui`]) the indicator is recomputed from the picking
//! query each tick: while the UI is enabled and a tile is hovered, the
//! indicator set is brought to exactly one marker at the hovered coordinate —
//! a single-slot model. Under the event-driven strategy
//! ([`hover_indicator_lifecycle`]) the markers follow the enter/leave hover
//! events instead: one marker is created per "entered" event and every marker
//! at a tile's position is destroyed on its "left" event — a set-
//! reconciliation model that tolerates transient duplicates. Either way,
//! while the UI is disabled the cleanup sweep destroys whatever markers
//! remain.
//!
//! The mover consumes "just selected" picking events: it re-scans the grid
//! for the first tile flagged selected, teleports the player to that tile's
//! horizontal coordinates seated half a unit above ground, and clears the
//! flag, so a selection is a one-shot signal. Every other event kind is a
//! no-op for the mover, as is every event while the UI is disabled or while
//! no tile is flagged.

use vstd::prelude::*;

use crate::board::Board;
use crate::board::GridPos;
use crate::board::Pos;
use crate::scene::GridTile;
use crate::scene::MovementHoverIndicator;
use crate::scene::Scene;
use crate::scene::SceneModel;

verus! {

/// The edge, if any, that the movement-UI toggle key made this tick.
#[derive(Clone, Copy, PartialEq, Eq, Structural, Debug)]
pub enum ToggleEdge {
    /// The key did not change this tick (whether held or up).
    Idle,
    /// The key transitioned to pressed this tick.
    Pressed,
    /// The key transitioned to released this tick.
    Released,
}

/// A selection event from the picking collaborator, carrying the index of the
/// tile it concerns.
#[derive(Clone, Copy, PartialEq, Eq, Structural, Debug)]
pub enum SelectionEvent {
    JustSelected(usize),
    JustDeselected(usize),
}

/// A hover event from the picking collaborator, carrying the index of the
/// tile it concerns.
#[derive(Clone, Copy, PartialEq, Eq, Structural, Debug)]
pub enum HoverEvent {
    JustEntered(usize),
    JustLeft(usize),
}

/// One picking event of this tick.
#[derive(Clone, Copy, PartialEq, Eq, Structural, Debug)]
pub enum PickingEvent {
    Selection(SelectionEvent),
    Hover(HoverEvent),
}

/// The indicator marking the tile at grid coordinate `h`.
pub open spec fn indicator_at(h: GridPos) -> MovementHoverIndicator {
    MovementHoverIndicator { x: h.x, z: h.z }
}

/// The vertical coordinate, in half-units, of a player seated on a tile:
/// half a unit above ground.
pub open spec fn seated_y2(b: Board) -> int {
    2 * b.ground_elevation + 1
}

/// The toggle transition. A press edge while the UI is disabled enables it
/// and, when a tile is already under the pointer, immediately creates a hover
/// indicator there. A release edge while the UI is enabled disables it; the
/// indicators are then swept by the cleanup pass of the same tick. An edge
/// that does not match the prior state, or no edge at all, changes nothing.
pub open spec fn spec_toggle(
    m: SceneModel,
    edge: ToggleEdge,
    hovered: Option<GridPos>,
) -> SceneModel {
    if edge == ToggleEdge::Pressed && !m.enabled {
        match hovered {
            Option::Some(h) => SceneModel {
                enabled: true,
                indicators: m.indicators.push(indicator_at(h)),
                ..m
            },
            Option::None => SceneModel { enabled: true, ..m },
        }
    } else if edge == ToggleEdge::Released && m.enabled {
        SceneModel { enabled: false, ..m }
    } else {
        m
    }
}

/// The hover reconciliation. While the UI is enabled and a tile is hovered,
/// the indicator set becomes exactly one marker at the hovered coordinate;
/// when the single existing marker already sits there, nothing is recreated.
/// While the UI is disabled, or while no tile is hovered, nothing happens.
pub open spec fn spec_movement_ui(m: SceneModel, hovered: Option<GridPos>) -> SceneModel {
    if !m.enabled {
        m
    } else {
        match hovered {
            Option::Some(h) => {
                if m.indicators.len() == 1 && m.indicators[0] == indicator_at(h) {
                    m
                } else {
                    SceneModel { indicators: seq![indicator_at(h)], ..m }
                }
            },
            Option::None => m,
        }
    }
}

/// Which backing strategy drives the hover-indicator lifecycle. Both give the
/// same external behaviour; a variant picks one at configuration time.
#[derive(Clone, Copy, PartialEq, Eq, Structural, Debug)]
pub enum HoverStrategy {
    /// Reconcile the indicator from the continuous picking query each tick
    /// ([`movement_ui`]): a single-slot model, at most one indicator ever.
    ContinuousPoll,
    /// React to the enter/leave hover events of the picking collaborator
    /// ([`hover_indicator_lifecycle`]): a set-reconciliation model that
    /// tolerates transient duplicates and cleans by position match.
    EventDriven,
}

/// Keeps the indicators that do not sit at the horizontal coordinates
/// `(tx, tz)`; the comparison ignores the vertical coordinate.
pub open spec fn not_at(tx: int, tz: int) -> spec_fn(MovementHoverIndicator) -> bool {
    |ind: MovementHoverIndicator| !(ind.x == tx && ind.z == tz)
}

/// What one picking event does to the indicator set under the event-driven
/// strategy. While the UI is enabled: a "tile newly entered hover" event
/// creates one indicator at that tile's coordinates; a "tile newly left
/// hover" event destroys every indicator whose horizontal coordinates equal
/// that tile's. Selection events, events naming no existing tile, and every
/// event while the UI is disabled change nothing.
pub open spec fn spec_hover_consume(m: SceneModel, e: PickingEvent) -> SceneModel {
    if !m.enabled {
        m
    } else {
        match e {
            PickingEvent::Hover(HoverEvent::JustEntered(i)) => {
                if i < m.tiles.len() {
                    SceneModel {
                        indicators: m.indicators.push(
                            MovementHoverIndicator { x: m.tiles[i as int].x, z: m.tiles[i as int].z },
                        ),
                        ..m
                    }
                } else {
                    m
                }
            },
            PickingEvent::Hover(HoverEvent::JustLeft(i)) => {
                if i < m.tiles.len() {
                    SceneModel {
                        indicators: m.indicators.filter(
                            not_at(m.tiles[i as int].x as int, m.tiles[i as int].z as int),
                        ),
                        ..m
                    }
                } else {
                    m
                }
            },
            _ => m,
        }
    }
}

/// The event-driven lifecycle over the whole tick: the hover events apply one
/// after the other, in the order the picking collaborator raised them.
pub open spec fn spec_hover_lifecycle(m: SceneModel, evs: Seq<PickingEvent>) -> SceneModel
    decreases evs.len(),
{
    if evs.len() == 0 {
        m
    } else {
        spec_hover_lifecycle(spec_hover_consume(m, evs[0]), evs.subrange(1, evs.len() as int))
    }
}

/// The cleanup sweep: while the UI is disabled, every indicator is destroyed.
pub open spec fn spec_clean_up(m: SceneModel) -> SceneModel {
    if m.enabled {
        m
    } else {
        SceneModel { indicators: Seq::empty(), ..m }
    }
}

/// The index of the first tile flagged selected, or `tiles.len()` when none
/// is.
pub open spec fn first_selected(tiles: Seq<GridTile>) -> int
    decreases tiles.len(),
{
    if tiles.len() == 0 {
        0
    } else if tiles[0].selected {
        0
    } else {
        1 + first_selected(tiles.drop_first())
    }
}

/// What one picking event does to the scene. While the UI is enabled, a
/// "just selected" event teleports the player to the first tile flagged
/// selected — seated half a unit above ground — and clears that tile's flag;
/// when no tile is flagged the event is ignored. Every other event kind, and
/// every event while the UI is disabled, changes nothing.
pub open spec fn spec_consume(m: SceneModel, e: PickingEvent) -> SceneModel {
    if !m.enabled {
        m
    } else {
        match e {
            PickingEvent::Selection(SelectionEvent::JustSelected(_)) => {
                let i = first_selected(m.tiles);
                if i < m.tiles.len() {
                    SceneModel {
                        player: Pos {
                            x: m.tiles[i].x,
                            y2: seated_y2(m.board) as i64,
                            z: m.tiles[i].z,
                        },
                        tiles: m.tiles.update(
                            i,
                            GridTile { selected: false, ..m.tiles[i] },
                        ),
                        ..m
                    }
                } else {
                    m
                }
            },
            _ => m,
        }
    }
}

/// The mover's transition over the whole tick: the events apply one after the
/// other, in the order the picking collaborator raised them.
pub open spec fn spec_movement(m: SceneModel, evs: Seq<PickingEvent>) -> SceneModel
    decreases evs.len(),
{
    if evs.len() == 0 {
        m
    } else {
        spec_movement(spec_consume(m, evs[0]), evs.subrange(1, evs.len() as int))
    }
}

/// One whole tick of the picking side: toggle handling, the hover lifecycle
/// of the configured strategy, the cleanup sweep, then movement. The two
/// event consumers are partitioned by event kind — the lifecycle reads only
/// hover events, the mover only selection events — so no event is applied
/// twice.
pub open spec fn spec_tick(
    m: SceneModel,
    edge: ToggleEdge,
    hovered: Option<GridPos>,
    evs: Seq<PickingEvent>,
    strategy: HoverStrategy,
) -> SceneModel {
    let after_toggle = spec_toggle(m, edge, hovered);
    let after_hover = if strategy == HoverStrategy::ContinuousPoll {
        spec_movement_ui(after_toggle, hovered)
    } else {
        spec_hover_lifecycle(after_toggle, evs)
    };
    spec_movement(spec_clean_up(after_hover), evs)
}

/// Toggles the movement UI on the edges of the designated key. `hovered` is
/// the answer of the picking query at the press edge: the tile currently
/// under the pointer, if any.
pub fn toggle_movement_ui(s: &mut Scene, edge: ToggleEdge, hovered: Option<GridPos>)
    requires
        old(s).wf(),
    ensures
        final(s)@ == spec_toggle(old(s)@, edge, hovered),
        final(s).wf(),
{
    if edge == ToggleEdge::Pressed && !s.ui.enabled {
        s.ui.enabled = true;
        match hovered {
            Some(h) => {
                s.indicators.push(MovementHoverIndicator { x: h.x, z: h.z });
            },
            None => {},
        }
    } else if edge == ToggleEdge::Released && s.ui.enabled {
        s.ui.enabled = false;
    }
    proof {
        assert(s@ =~= spec_toggle(old(s)@, edge, hovered));
    }
}

/// Reconciles the hover indicator with the picking query: while the UI is
/// enabled and a tile is hovered, leaves exactly one indicator at the hovered
/// coordinate and destroys every other.
pub fn movement_ui(s: &mut Scene, hovered: Option<GridPos>)
    requires
        old(s).wf(),
    ensures
        final(s)@ == spec_movement_ui(old(s)@, hovered),
        final(s).wf(),
{
    if !s.ui.enabled {
        return ;
    }
    if let Some(h) = hovered {
        let already = s.indicators.len() == 1 && s.indicators[0].x == h.x && s.indicators[0].z
            == h.z;
        if !already {
            s.indicators = Vec::new();
            s.indicators.push(MovementHoverIndicator { x: h.x, z: h.z });
            proof {
                assert(s@.indicators =~= seq![indicator_at(h)]);
                assert(s@ =~= spec_movement_ui(old(s)@, hovered));
            }
        }
    }
}

/// Consumes one picking event for the event-driven hover lifecycle, as
/// [`spec_hover_consume`] says.
#[verifier::loop_isolation(false)]
fn consume_hover_event(s: &mut Scene, e: PickingEvent)
    requires
        old(s).wf(),
    ensures
        final(s)@ == spec_hover_consume(old(s)@, e),
        final(s).wf(),
{
    if !s.ui.enabled {
        return ;
    }
    match e {
        PickingEvent::Hover(HoverEvent::JustEntered(i)) => {
            if i < s.tiles.len() {
                let t = s.tiles[i];
                s.indicators.push(MovementHoverIndicator { x: t.x, z: t.z });
                proof {
                    assert(s@ =~= spec_hover_consume(old(s)@, e));
                }
            }
        },
        PickingEvent::Hover(HoverEvent::JustLeft(i)) => {
            if i < s.tiles.len() {
                let t = s.tiles[i];
                let ghost pred = not_at(t.x as int, t.z as int);
                let mut kept: Vec<MovementHoverIndicator> = Vec::new();
                let mut j: usize = 0;
                proof {
                    assert(s@.indicators.subrange(0, 0).filter(pred) =~= Seq::<
                        MovementHoverIndicator,
                    >::empty());
                }
                while j < s.indicators.len()
                    invariant
                        j <= s.indicators@.len(),
                        kept@ == s.indicators@.subrange(0, j as int).filter(pred),
                    decreases s.indicators@.len() - j,
                {
                    let ind = s.indicators[j];
                    proof {
                        let prefix = s.indicators@.subrange(0, j as int);
                        prefix.lemma_filter_push(ind, pred);
                        assert(s.indicators@.subrange(0, j + 1) =~= prefix.push(ind));
                    }
                    if !(ind.x == t.x && ind.z == t.z) {
                        kept.push(ind);
                    }
                    j += 1;
                }
                proof {
                    assert(s@.indicators.subrange(0, s@.indicators.len() as int)
                        =~= s@.indicators);
                }
                s.indicators = kept;
                proof {
                    assert(s@ =~= spec_hover_consume(old(s)@, e));
                }
            }
        },
        _ => {},
    }
}

/// The event-driven hover lifecycle: drains this tick's picking events in
/// order and consumes each hover event as [`spec_hover_consume`] says.
pub fn hover_indicator_lifecycle(s: &mut Scene, events: &Vec<PickingEvent>)
    requires
        old(s).wf(),
    ensures
        final(s)@ == spec_hover_lifecycle(old(s)@, events@),
        final(s).wf(),
{
    let ghost m0 = s@;
    let mut i: usize = 0;
    proof {
        assert(events@.subrange(0, events@.len() as int) =~= events@);
    }
    while i < events.len()
        invariant
            s.wf(),
            i <= events@.len(),
            spec_hover_lifecycle(m0, events@) == spec_hover_lifecycle(
                s@,
                events@.subrange(i as int, events@.len() as int),
            ),
        decreases events@.len() - i,
    {
        proof {
            let rest = events@.subrange(i as int, events@.len() as int);
            assert(rest[0] == events@[i as int]);
            assert(rest.subrange(1, rest.len() as int) =~= events@.subrange(
                i + 1,
                events@.len() as int,
            ));
        }
        consume_hover_event(s, events[i]);
        i += 1;
    }
    proof {
        assert(events@.subrange(i as int, events@.len() as int) =~= Seq::<PickingEvent>::empty());
    }
}

/// The cleanup sweep, run every tick: while the UI is disabled, despawns
/// every leftover indicator.
pub fn clean_up_movement_indicators(s: &mut Scene)
    requires
        old(s).wf(),
    ensures
        final(s)@ == spec_clean_up(old(s)@),
        final(s).wf(),
{
    if !s.ui.enabled {
        s.indicators = Vec::new();
        proof {
            assert(s@.indicators =~= Seq::<MovementHoverIndicator>::empty());
            assert(s@ =~= spec_clean_up(old(s)@));
        }
    }
}

/// [`first_selected`] always lands inside the sequence or just past its end.
proof fn lemma_first_selected_bounds(tiles: Seq<GridTile>)
    ensures
        0 <= first_selected(tiles) <= tiles.len(),
    decreases tiles.len(),
{
    if tiles.len() > 0 && !tiles[0].selected {
        lemma_first_selected_bounds(tiles.drop_first());
    }
}

/// Characterisation of [`first_selected`] when a first flagged tile exists.
proof fn lemma_first_selected_is(tiles: Seq<GridTile>, i: int)
    requires
        0 <= i < tiles.len(),
        tiles[i].selected,
        forall|j: int| 0 <= j < i ==> !tiles[j].selected,
    ensures
        first_selected(tiles) == i,
    decreases i,
{
    if i > 0 {
        assert(!tiles[0].selected);
        lemma_first_selected_is(tiles.drop_first(), i - 1);
    }
}

/// Characterisation of [`first_selected`] when no tile is flagged.
proof fn lemma_first_selected_none(tiles: Seq<GridTile>)
    requires
        forall|j: int| 0 <= j < tiles.len() ==> !tiles[j].selected,
    ensures
        first_selected(tiles) == tiles.len(),
    decreases tiles.len(),
{
    if tiles.len() > 0 {
        lemma_first_selected_none(tiles.drop_first());
    }
}

/// Consumes one picking event, as [`spec_consume`] says.
#[verifier::loop_isolation(false)]
fn consume_event(s: &mut Scene, e: PickingEvent)
    requires
        old(s).wf(),
    ensures
        final(s)@ == spec_consume(old(s)@, e),
        final(s).wf(),
{
    if !s.ui.enabled {
        return ;
    }
    match e {
        PickingEvent::Selection(SelectionEvent::JustSelected(_)) => {
            let n = s.tiles.len();
            let mut i: usize = 0;
            while i < n
                invariant
                    0 <= i <= n,
                    n == s.tiles@.len(),
                    s == old(s),
                    old(s).wf(),
                    old(s)@.enabled,
                    forall|j: int| 0 <= j < i ==> !s.tiles@[j].selected,
                decreases n - i,
            {
                let t = s.tiles[i];
                if t.selected {
                    proof {
                        lemma_first_selected_is(s.tiles@, i as int);
                        assert(s@.tiles[i as int].wf(s@.board));
                    }
                    s.player = Pos { x: t.x, y2: 2 * s.board.ground_elevation + 1, z: t.z };
                    s.tiles.set(i, GridTile { x: t.x, y: t.y, z: t.z, selected: false });
                    proof {
                        assert(s@ =~= spec_consume(old(s)@, e));
                        assert forall|j: int|
                            0 <= j < s@.tiles.len() implies s@.tiles[j].wf(s@.board) by {
                            assert(old(s)@.tiles[j].wf(old(s)@.board));
                        }
                    }
                    return ;
                }
                i += 1;
            }
            proof {
                lemma_first_selected_none(s.tiles@);
            }
        },
        _ => {},
    }
}

/// The tile-picking mover: drains this tick's picking events in order and
/// consumes each as [`spec_consume`] says.
pub fn movement(s: &mut Scene, events: &Vec<PickingEvent>)
    requires
        old(s).wf(),
    ensures
        final(s)@ == spec_movement(old(s)@, events@),
        final(s).wf(),
{
    let ghost m0 = s@;
    let mut i: usize = 0;
    proof {
        assert(events@.subrange(0, events@.len() as int) =~= events@);
    }
    while i < events.len()
        invariant
            s.wf(),
            i <= events@.len(),
            spec_movement(m0, events@) == spec_movement(
                s@,
                events@.subrange(i as int, events@.len() as int),
            ),
        decreases events@.len() - i,
    {
        proof {
            let rest = events@.subrange(i as int, events@.len() as int);
            assert(rest[0] == events@[i as int]);
            assert(rest.subrange(1, rest.len() as int) =~= events@.subrange(
                i + 1,
                events@.len() as int,
            ));
        }
        consume_event(s, events[i]);
        i += 1;
    }
    proof {
        assert(events@.subrange(i as int, events@.len() as int) =~= Seq::<PickingEvent>::empty());
    }
}

/// One whole tick of the picking side, in the fixed pass order: toggle
/// handling, the hover lifecycle of the configured strategy, the cleanup
/// sweep, then movement.
pub fn tick(
    s: &mut Scene,
    edge: ToggleEdge,
    hovered: Option<GridPos>,
    events: &Vec<PickingEvent>,
    strategy: HoverStrategy,
)
    requires
        old(s).wf(),
    ensures
        final(s)@ == spec_tick(old(s)@, edge, hovered, events@, strategy),
        final(s).wf(),
{
    toggle_movement_ui(s, edge, hovered);
    if strategy == HoverStrategy::ContinuousPoll {
        movement_ui(s, hovered);
    } else {
        hover_indicator_lifecycle(s, events);
    }
    clean_up_movement_indicators(s);
    movement(s, events);
}

/// The mover touches only the player and the selection flags: the
/// movement-UI flag, the indicators, the board and the tile positions are
/// left alone by any sequence of picking events.
pub proof fn lemma_movement_preserves_ui(m: SceneModel, evs: Seq<PickingEvent>)
    ensures
        spec_movement(m, evs).enabled == m.enabled,
        spec_movement(m, evs).indicators == m.indicators,
        spec_movement(m, evs).board == m.board,
        spec_movement(m, evs).tiles.len() == m.tiles.len(),
    decreases evs.len(),
{
    if evs.len() > 0 {
        lemma_first_selected_bounds(m.tiles);
        assert(spec_consume(m, evs[0]).tiles.len() == m.tiles.len());
        lemma_movement_preserves_ui(spec_consume(m, evs[0]), evs.subrange(1, evs.len() as int));
    }
}

/// The hover lifecycle touches only the indicators: the movement-UI flag,
/// the player, the board and the tiles are left alone by any sequence of
/// picking events.
pub proof fn lemma_hover_lifecycle_preserves_rest(m: SceneModel, evs: Seq<PickingEvent>)
    ensures
        spec_hover_lifecycle(m, evs).enabled == m.enabled,
        spec_hover_lifecycle(m, evs).player == m.player,
        spec_hover_lifecycle(m, evs).board == m.board,
        spec_hover_lifecycle(m, evs).tiles == m.tiles,
    decreases evs.len(),
{
    if evs.len() > 0 {
        lemma_hover_lifecycle_preserves_rest(
            spec_hover_consume(m, evs[0]),
            evs.subrange(1, evs.len() as int),
        );
    }
}

/// Under the event-driven strategy, a "tile newly left hover" event destroys
/// every indicator at that tile's horizontal coordinates: none survives the
/// event, however many had accumulated there.
pub proof fn lemma_leave_clears_tile(m: SceneModel, i: usize)
    requires
        m.enabled,
        i < m.tiles.len(),
    ensures
        forall|k: int|
            0 <= k < spec_hover_consume(
                m,
                PickingEvent::Hover(HoverEvent::JustLeft(i)),
            ).indicators.len() ==> !(spec_hover_consume(
                m,
                PickingEvent::Hover(HoverEvent::JustLeft(i)),
            ).indicators[k].x == m.tiles[i as int].x && spec_hover_consume(
                m,
                PickingEvent::Hover(HoverEvent::JustLeft(i)),
            ).indicators[k].z == m.tiles[i as int].z),
{
    let pred = not_at(m.tiles[i as int].x as int, m.tiles[i as int].z as int);
    let after = spec_hover_consume(m, PickingEvent::Hover(HoverEvent::JustLeft(i)));
    assert forall|k: int| 0 <= k < after.indicators.len() implies pred(after.indicators[k]) by {
        m.indicators.lemma_filter_pred(pred, k);
    }
}

/// Idempotence of the toggle: a press edge while the UI is already enabled
/// changes nothing — in particular it spawns no duplicate indicator — and a
/// release edge while it is already disabled changes nothing, so nothing is
/// despawned either.
pub proof fn lemma_toggle_idempotent(m: SceneModel, hovered: Option<GridPos>)
    ensures
        m.enabled ==> spec_toggle(m, ToggleEdge::Pressed, hovered) == m,
        !m.enabled ==> spec_toggle(m, ToggleEdge::Released, hovered) == m,
{
}

/// The round trip of enabling, hovering and disabling: a tick whose toggle
/// edge is a release always ends with the UI disabled, and every tick that
/// ends with the UI disabled ends with zero hover indicators — however many
/// hover or selection events arrived in between, and whatever indicators the
/// scene held before.
pub proof fn lemma_disable_clears_indicators(
    m: SceneModel,
    edge: ToggleEdge,
    hovered: Option<GridPos>,
    evs: Seq<PickingEvent>,
    strategy: HoverStrategy,
)
    ensures
        edge == ToggleEdge::Released ==> !spec_tick(m, edge, hovered, evs, strategy).enabled,
        !spec_tick(m, edge, hovered, evs, strategy).enabled ==> spec_tick(
            m,
            edge,
            hovered,
            evs,
            strategy,
        ).indicators.len() == 0,
{
    let after_toggle = spec_toggle(m, edge, hovered);
    let after_hover = if strategy == HoverStrategy::ContinuousPoll {
        spec_movement_ui(after_toggle, hovered)
    } else {
        spec_hover_lifecycle(after_toggle, evs)
    };
    lemma_hover_lifecycle_preserves_rest(after_toggle, evs);
    lemma_movement_preserves_ui(spec_clean_up(after_hover), evs);
}

/// The indicator invariant — at most one indicator, none while the UI is
/// disabled — is preserved by every tick of the continuous-poll strategy.
/// (The event-driven strategy deliberately tolerates transient duplicates,
/// so only the disabled half holds there; see
/// [`lemma_disable_clears_indicators`].)
pub proof fn lemma_tick_preserves_indicators_ok(
    m: SceneModel,
    edge: ToggleEdge,
    hovered: Option<GridPos>,
    evs: Seq<PickingEvent>,
)
    requires
        m.indicators_ok(),
    ensures
        spec_tick(m, edge, hovered, evs, HoverStrategy::ContinuousPoll).indicators_ok(),
{
    lemma_movement_preserves_ui(
        spec_clean_up(spec_movement_ui(spec_toggle(m, edge, hovered), hovered)),
        evs,
    );
}

/// Events the mover explicitly ignores: everything while the UI is disabled,
/// hover events, deselections, and a selection while no tile is flagged.
pub proof fn lemma_consume_ignores_other_events(m: SceneModel, e: PickingEvent)
    ensures
        !m.enabled ==> spec_consume(m, e) == m,
        (e matches PickingEvent::Hover(_)) ==> spec_consume(m, e) == m,
        (e matches PickingEvent::Selection(SelectionEvent::JustDeselected(_))) ==> spec_consume(
            m,
            e,
        ) == m,
        (forall|j: int| 0 <= j < m.tiles.len() ==> !m.tiles[j].selected) ==> spec_consume(m, e)
            == m,
{
    if forall|j: int| 0 <= j < m.tiles.len() ==> !m.tiles[j].selected {
        lemma_first_selected_none(m.tiles);
    }
}

} // verus!
