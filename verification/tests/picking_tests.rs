use grid_movement::board::Board;
use grid_movement::board::GridPos;
use grid_movement::board::Pos;
use grid_movement::picking::clean_up_movement_indicators;
use grid_movement::picking::movement;
use grid_movement::picking::movement_ui;
use grid_movement::picking::hover_indicator_lifecycle;
use grid_movement::picking::tick;
use grid_movement::picking::HoverStrategy;
use grid_movement::picking::toggle_movement_ui;
use grid_movement::picking::HoverEvent;
use grid_movement::picking::PickingEvent;
use grid_movement::picking::SelectionEvent;
use grid_movement::picking::ToggleEdge;
use grid_movement::scene::GridTile;
use grid_movement::scene::MovementHoverIndicator;
use grid_movement::scene::MovementUiState;
use grid_movement::scene::Scene;

fn board() -> Board {
    Board { half_extent: 14, ground_elevation: 0, max_elevation: 28 }
}

fn tile(x: i64, z: i64, selected: bool) -> GridTile {
    GridTile { x, y: 1, z, selected }
}

fn scene_with(tiles: Vec<GridTile>) -> Scene {
    Scene::new(board(), tiles, 2)
}

#[test]
fn ui_starts_disabled() {
    let s = scene_with(vec![tile(0, 0, false)]);
    assert!(!s.ui.enabled);
    assert_eq!(s.indicators.len(), 0);
    assert_eq!(s.player, Pos { x: 0, y2: 4, z: 0 });
    let d: MovementUiState = Default::default();
    assert!(!d.enabled);
}

#[test]
fn press_enables_and_spawns_indicator_under_pointer() {
    let mut s = scene_with(vec![tile(3, -2, false)]);
    toggle_movement_ui(&mut s, ToggleEdge::Pressed, Some(GridPos { x: 3, z: -2 }));
    assert!(s.ui.enabled);
    assert_eq!(s.indicators.len(), 1);
    assert_eq!(s.indicators[0], MovementHoverIndicator { x: 3, z: -2 });
}

#[test]
fn press_with_no_tile_under_pointer_only_enables() {
    let mut s = scene_with(vec![tile(3, -2, false)]);
    toggle_movement_ui(&mut s, ToggleEdge::Pressed, None);
    assert!(s.ui.enabled);
    assert_eq!(s.indicators.len(), 0);
}

#[test]
fn repeated_press_while_enabled_changes_nothing() {
    let mut s = scene_with(vec![tile(3, -2, false)]);
    toggle_movement_ui(&mut s, ToggleEdge::Pressed, Some(GridPos { x: 3, z: -2 }));
    toggle_movement_ui(&mut s, ToggleEdge::Pressed, Some(GridPos { x: 3, z: -2 }));
    toggle_movement_ui(&mut s, ToggleEdge::Pressed, Some(GridPos { x: 5, z: 5 }));
    assert!(s.ui.enabled);
    assert_eq!(s.indicators.len(), 1);
    assert_eq!(s.indicators[0], MovementHoverIndicator { x: 3, z: -2 });
}

#[test]
fn repeated_release_while_disabled_changes_nothing() {
    let mut s = scene_with(vec![tile(3, -2, false)]);
    toggle_movement_ui(&mut s, ToggleEdge::Released, None);
    toggle_movement_ui(&mut s, ToggleEdge::Released, Some(GridPos { x: 3, z: -2 }));
    assert!(!s.ui.enabled);
    assert_eq!(s.indicators.len(), 0);
}

#[test]
fn idle_edge_changes_nothing() {
    let mut s = scene_with(vec![tile(3, -2, false)]);
    toggle_movement_ui(&mut s, ToggleEdge::Idle, Some(GridPos { x: 3, z: -2 }));
    assert!(!s.ui.enabled);
    assert_eq!(s.indicators.len(), 0);
}

#[test]
fn hover_reconciliation_follows_the_pointer() {
    let mut s = scene_with(vec![tile(0, 0, false), tile(1, 0, false)]);
    toggle_movement_ui(&mut s, ToggleEdge::Pressed, Some(GridPos { x: 0, z: 0 }));
    movement_ui(&mut s, Some(GridPos { x: 0, z: 0 }));
    assert_eq!(s.indicators.len(), 1);
    assert_eq!(s.indicators[0], MovementHoverIndicator { x: 0, z: 0 });
    movement_ui(&mut s, Some(GridPos { x: 1, z: 0 }));
    assert_eq!(s.indicators.len(), 1);
    assert_eq!(s.indicators[0], MovementHoverIndicator { x: 1, z: 0 });
    // no pointer over the grid: the indicator is left alone
    movement_ui(&mut s, None);
    assert_eq!(s.indicators.len(), 1);
}

#[test]
fn hover_reconciliation_is_idle_while_disabled() {
    let mut s = scene_with(vec![tile(0, 0, false)]);
    movement_ui(&mut s, Some(GridPos { x: 0, z: 0 }));
    assert_eq!(s.indicators.len(), 0);
}

#[test]
fn cleanup_sweeps_only_while_disabled() {
    let mut s = scene_with(vec![tile(0, 0, false)]);
    toggle_movement_ui(&mut s, ToggleEdge::Pressed, Some(GridPos { x: 0, z: 0 }));
    clean_up_movement_indicators(&mut s);
    assert_eq!(s.indicators.len(), 1);
    toggle_movement_ui(&mut s, ToggleEdge::Released, Some(GridPos { x: 0, z: 0 }));
    assert_eq!(s.indicators.len(), 1);
    clean_up_movement_indicators(&mut s);
    assert_eq!(s.indicators.len(), 0);
}

#[test]
fn enable_hover_disable_leaves_zero_indicators() {
    let mut s = scene_with(vec![tile(0, 0, false), tile(1, 1, false)]);
    let no_events: Vec<PickingEvent> = Vec::new();
    tick(&mut s, ToggleEdge::Pressed, Some(GridPos { x: 0, z: 0 }), &no_events, HoverStrategy::ContinuousPoll);
    tick(&mut s, ToggleEdge::Idle, Some(GridPos { x: 1, z: 1 }), &no_events, HoverStrategy::ContinuousPoll);
    tick(&mut s, ToggleEdge::Idle, Some(GridPos { x: 0, z: 0 }), &no_events, HoverStrategy::ContinuousPoll);
    assert_eq!(s.indicators.len(), 1);
    tick(&mut s, ToggleEdge::Released, Some(GridPos { x: 0, z: 0 }), &no_events, HoverStrategy::ContinuousPoll);
    assert!(!s.ui.enabled);
    assert_eq!(s.indicators.len(), 0);
}

#[test]
fn selection_moves_player_onto_selected_tile_and_clears_flag() {
    let mut s = scene_with(vec![tile(0, 0, false), tile(3, -2, true)]);
    s.ui.enabled = true;
    let events = vec![PickingEvent::Selection(SelectionEvent::JustSelected(1))];
    movement(&mut s, &events);
    // seated half a unit above ground elevation 0: y2 == 1
    assert_eq!(s.player, Pos { x: 3, y2: 1, z: -2 });
    assert!(!s.tiles[1].selected);
    assert!(!s.tiles[0].selected);
}

#[test]
fn selection_without_flagged_tile_is_ignored() {
    let mut s = scene_with(vec![tile(0, 0, false), tile(3, -2, false)]);
    s.ui.enabled = true;
    let before = s.player;
    let events = vec![PickingEvent::Selection(SelectionEvent::JustSelected(0))];
    movement(&mut s, &events);
    assert_eq!(s.player, before);
}

#[test]
fn selection_while_disabled_is_ignored() {
    let mut s = scene_with(vec![tile(3, -2, true)]);
    let before = s.player;
    let events = vec![PickingEvent::Selection(SelectionEvent::JustSelected(0))];
    movement(&mut s, &events);
    assert_eq!(s.player, before);
    assert!(s.tiles[0].selected);
}

#[test]
fn hover_and_deselection_events_are_ignored_by_the_mover() {
    let mut s = scene_with(vec![tile(3, -2, true)]);
    s.ui.enabled = true;
    let before = s.player;
    let events = vec![
        PickingEvent::Hover(HoverEvent::JustEntered(0)),
        PickingEvent::Hover(HoverEvent::JustLeft(0)),
        PickingEvent::Selection(SelectionEvent::JustDeselected(0)),
    ];
    movement(&mut s, &events);
    assert_eq!(s.player, before);
    assert!(s.tiles[0].selected);
}

#[test]
fn selection_is_a_one_shot_signal() {
    let mut s = scene_with(vec![tile(3, -2, true), tile(5, 5, false)]);
    s.ui.enabled = true;
    let events = vec![
        PickingEvent::Selection(SelectionEvent::JustSelected(0)),
        PickingEvent::Selection(SelectionEvent::JustSelected(0)),
    ];
    movement(&mut s, &events);
    // the second event finds no flagged tile and is ignored
    assert_eq!(s.player, Pos { x: 3, y2: 1, z: -2 });
}

#[test]
fn two_flagged_tiles_are_consumed_in_storage_order() {
    let mut s = scene_with(vec![tile(3, -2, true), tile(5, 5, true)]);
    s.ui.enabled = true;
    let one = vec![PickingEvent::Selection(SelectionEvent::JustSelected(0))];
    movement(&mut s, &one);
    assert_eq!(s.player, Pos { x: 3, y2: 1, z: -2 });
    assert!(!s.tiles[0].selected);
    assert!(s.tiles[1].selected);
    movement(&mut s, &one);
    assert_eq!(s.player, Pos { x: 5, y2: 1, z: 5 });
    assert!(!s.tiles[1].selected);
}

#[test]
fn a_whole_tick_runs_the_passes_in_order() {
    let mut s = scene_with(vec![tile(3, -2, true)]);
    let events = vec![PickingEvent::Selection(SelectionEvent::JustSelected(0))];
    // press, hover the tile, and select it, all in one tick
    tick(&mut s, ToggleEdge::Pressed, Some(GridPos { x: 3, z: -2 }), &events, HoverStrategy::ContinuousPoll);
    assert!(s.ui.enabled);
    assert_eq!(s.indicators.len(), 1);
    assert_eq!(s.indicators[0], MovementHoverIndicator { x: 3, z: -2 });
    assert_eq!(s.player, Pos { x: 3, y2: 1, z: -2 });
    assert!(!s.tiles[0].selected);
}

#[test]
fn entered_event_spawns_indicator_at_tile() {
    let mut s = scene_with(vec![tile(0, 0, false), tile(4, 7, false)]);
    s.ui.enabled = true;
    let events = vec![PickingEvent::Hover(HoverEvent::JustEntered(1))];
    hover_indicator_lifecycle(&mut s, &events);
    assert_eq!(s.indicators.len(), 1);
    assert_eq!(s.indicators[0], MovementHoverIndicator { x: 4, z: 7 });
}

#[test]
fn left_event_destroys_every_indicator_at_that_position() {
    let mut s = scene_with(vec![tile(4, 7, false), tile(1, 1, false)]);
    s.ui.enabled = true;
    // stale duplicates can accumulate under the event-driven strategy
    let enters = vec![
        PickingEvent::Hover(HoverEvent::JustEntered(0)),
        PickingEvent::Hover(HoverEvent::JustEntered(0)),
        PickingEvent::Hover(HoverEvent::JustEntered(1)),
    ];
    hover_indicator_lifecycle(&mut s, &enters);
    assert_eq!(s.indicators.len(), 3);
    let leave = vec![PickingEvent::Hover(HoverEvent::JustLeft(0))];
    hover_indicator_lifecycle(&mut s, &leave);
    // cleanup is by position match, not identity: both markers on tile 0 go
    assert_eq!(s.indicators.len(), 1);
    assert_eq!(s.indicators[0], MovementHoverIndicator { x: 1, z: 1 });
}

#[test]
fn hover_lifecycle_is_idle_while_disabled() {
    let mut s = scene_with(vec![tile(4, 7, false)]);
    let events = vec![PickingEvent::Hover(HoverEvent::JustEntered(0))];
    hover_indicator_lifecycle(&mut s, &events);
    assert_eq!(s.indicators.len(), 0);
}

#[test]
fn hover_lifecycle_ignores_unknown_tiles_and_selections() {
    let mut s = scene_with(vec![tile(4, 7, false)]);
    s.ui.enabled = true;
    let events = vec![
        PickingEvent::Hover(HoverEvent::JustEntered(9)),
        PickingEvent::Hover(HoverEvent::JustLeft(9)),
        PickingEvent::Selection(SelectionEvent::JustSelected(0)),
    ];
    hover_indicator_lifecycle(&mut s, &events);
    assert_eq!(s.indicators.len(), 0);
}

#[test]
fn event_driven_round_trip_leaves_zero_indicators() {
    let mut s = scene_with(vec![tile(0, 0, false), tile(1, 1, false)]);
    let no_events: Vec<PickingEvent> = Vec::new();
    tick(&mut s, ToggleEdge::Pressed, Some(GridPos { x: 0, z: 0 }), &no_events, HoverStrategy::EventDriven);
    let hops = vec![
        PickingEvent::Hover(HoverEvent::JustEntered(1)),
        PickingEvent::Hover(HoverEvent::JustLeft(0)),
    ];
    tick(&mut s, ToggleEdge::Idle, Some(GridPos { x: 1, z: 1 }), &hops, HoverStrategy::EventDriven);
    assert_eq!(s.indicators.len(), 1);
    tick(&mut s, ToggleEdge::Released, None, &no_events, HoverStrategy::EventDriven);
    assert!(!s.ui.enabled);
    assert_eq!(s.indicators.len(), 0);
}
