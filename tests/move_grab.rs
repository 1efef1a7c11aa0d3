use move_grab::geometry::{Delta, LogicalPoint, DEAD_ZONE_RADIUS, UNITS_PER_PIXEL};
use move_grab::grab::{
    Command, CursorShape, GestureState, MoveGrab, Phase, BTN_LEFT, BTN_RIGHT,
};

const BTN_MIDDLE: u32 = 0x112;

fn px(x: i32, y: i32) -> LogicalPoint {
    let u = UNITS_PER_PIXEL as i32;
    LogicalPoint { x: x * u, y: y * u }
}

fn delta_px(dx: i64, dy: i64) -> Delta {
    Delta { dx: dx * UNITS_PER_PIXEL, dy: dy * UNITS_PER_PIXEL }
}

fn grab_at(x: i32, y: i32, button: u32) -> MoveGrab<&'static str> {
    MoveGrab::new(px(x, y), button, Some(("DP-1", px(x + 1, y + 2)))).unwrap()
}

/// Drives a grab from the origin into a move at `to`.
fn into_move(to: LogicalPoint, button: u32) -> MoveGrab<&'static str> {
    let mut g = grab_at(0, 0, button);
    assert_eq!(g.motion(to, true, true), vec![Command::QueryFloating]);
    assert_eq!(g.answer_floating(true), vec![Command::MoveBegin]);
    g.answer_move_begin(true);
    assert_eq!(g.answer_move_update(true), vec![Command::RedrawAll]);
    g
}

/// Drives a grab from the origin into a view-offset gesture at `to`.
fn into_view_offset(to: LogicalPoint, button: u32) -> MoveGrab<&'static str> {
    let mut g = grab_at(0, 0, button);
    g.motion(to, true, true);
    assert_eq!(g.answer_floating(false), vec![Command::QueryPlacement]);
    g.answer_placement(true);
    assert_eq!(g.answer_view_offset_update(Some(true)), vec![Command::RedrawOutput]);
    g
}

#[test]
fn new_without_output_gives_no_grab() {
    let g: Option<MoveGrab<u32>> = MoveGrab::new(px(3, 4), BTN_LEFT, None);
    assert!(g.is_none());
}

#[test]
fn new_records_start() {
    let g = grab_at(3, 4, BTN_LEFT);
    assert_eq!(g.start_location(), px(3, 4));
    assert_eq!(g.last_location(), px(3, 4));
    assert_eq!(g.start_button(), BTN_LEFT);
    assert_eq!(*g.start_output(), "DP-1");
    assert_eq!(g.start_pos_within_output(), px(4, 6));
    assert_eq!(g.gesture(), GestureState::Recognizing);
    assert_eq!(g.phase(), Phase::Ready);
    assert!(!g.is_move());
}

#[test]
fn dead_zone_keeps_recognizing() {
    let mut g = grab_at(0, 0, BTN_LEFT);
    for p in [px(3, 0), px(5, 5), px(0, -7), px(-7, 3)] {
        assert_eq!(g.motion(p, true, true), vec![]);
        assert_eq!(g.last_location(), p);
    }
    assert_eq!(g.gesture(), GestureState::Recognizing);
    assert_eq!(g.phase(), Phase::Ready);
}

#[test]
fn dead_zone_edge_is_outside() {
    let mut g = grab_at(0, 0, BTN_LEFT);
    let just_inside = LogicalPoint { x: DEAD_ZONE_RADIUS as i32 - 1, y: 0 };
    assert_eq!(g.motion(just_inside, true, true), vec![]);
    assert_eq!(g.motion(px(8, 0), true, true), vec![Command::QueryFloating]);
}

#[test]
fn dead_zone_is_measured_from_start_not_last() {
    let mut g = grab_at(0, 0, BTN_LEFT);
    assert_eq!(g.motion(px(5, 0), true, true), vec![]);
    assert_eq!(g.motion(px(7, 5), true, true), vec![Command::QueryFloating]);
}

#[test]
fn carry_through_applies_whole_displacement() {
    let mut g = grab_at(0, 0, BTN_LEFT);
    assert_eq!(g.motion(px(10, 2), true, true), vec![Command::QueryFloating]);
    assert_eq!(g.answer_floating(false), vec![Command::MoveBegin]);
    assert_eq!(
        g.answer_move_begin(true),
        vec![Command::SetCursor(CursorShape::Move), Command::MoveUpdate(delta_px(10, 2))]
    );
    assert!(g.is_move());
}

#[test]
fn later_motion_applies_per_event_delta() {
    let mut g = into_move(px(10, 2), BTN_LEFT);
    assert_eq!(g.motion(px(13, 1), true, true), vec![Command::MoveUpdate(delta_px(3, -1))]);
}

#[test]
fn vertical_dominant_tiled_scrolls_view() {
    let mut g = grab_at(0, 0, BTN_LEFT);
    g.motion(px(6, 9), true, true);
    assert_eq!(g.answer_floating(false), vec![Command::QueryPlacement]);
    assert_eq!(
        g.answer_placement(true),
        vec![
            Command::ViewOffsetBegin,
            Command::SetCursor(CursorShape::AllScroll),
            Command::ViewOffsetUpdate(-6 * UNITS_PER_PIXEL),
        ]
    );
    assert_eq!(g.gesture(), GestureState::ViewOffset);
}

#[test]
fn horizontal_dominant_tiled_moves() {
    let mut g = grab_at(0, 0, BTN_LEFT);
    g.motion(px(9, 6), true, true);
    assert_eq!(g.answer_floating(false), vec![Command::MoveBegin]);
}

#[test]
fn floating_moves_regardless_of_direction() {
    let mut g = grab_at(0, 0, BTN_LEFT);
    g.motion(px(1, 20), true, true);
    assert_eq!(g.answer_floating(true), vec![Command::MoveBegin]);
}

#[test]
fn equal_magnitudes_tiled_scroll_view() {
    let mut g = grab_at(0, 0, BTN_LEFT);
    g.motion(px(-7, 7), true, true);
    assert_eq!(g.answer_floating(false), vec![Command::QueryPlacement]);
}

#[test]
fn view_offset_update_inverts_horizontal_delta() {
    let mut g = into_view_offset(px(2, 10), BTN_LEFT);
    assert_eq!(
        g.motion(px(7, 30), true, true),
        vec![Command::ViewOffsetUpdate(-5 * UNITS_PER_PIXEL)]
    );
    assert_eq!(g.answer_view_offset_update(Some(false)), vec![]);
    assert_eq!(g.phase(), Phase::Ready);
}

#[test]
fn view_offset_over_releases() {
    let mut g = into_view_offset(px(2, 10), BTN_LEFT);
    g.motion(px(3, 12), true, true);
    assert_eq!(g.answer_view_offset_update(None), vec![Command::Release]);
    assert_eq!(g.phase(), Phase::Releasing);
}

#[test]
fn move_no_longer_ongoing_releases() {
    let mut g = into_move(px(10, 0), BTN_LEFT);
    g.motion(px(11, 0), true, true);
    assert_eq!(g.answer_move_update(false), vec![Command::Release]);
    assert_eq!(
        g.unset(),
        vec![Command::MoveEnd, Command::RedrawAll, Command::ResetCursor]
    );
    assert_eq!(g.phase(), Phase::Ended);
}

#[test]
fn refused_move_begin_releases_and_balances() {
    let mut g = grab_at(0, 0, BTN_LEFT);
    g.motion(px(10, 0), true, true);
    g.answer_floating(false);
    assert_eq!(g.answer_move_begin(false), vec![Command::Release]);
    assert_eq!(g.gesture(), GestureState::Recognizing);
    assert_eq!(g.phase(), Phase::Refused);
    assert_eq!(g.unset(), vec![Command::RedrawAll, Command::ResetCursor]);
    assert_eq!(g.phase(), Phase::Ended);
}

#[test]
fn unset_while_recognizing_with_refused_balancing_begin() {
    let mut g = grab_at(0, 0, BTN_LEFT);
    assert_eq!(g.unset(), vec![Command::MoveBegin]);
    assert_eq!(g.answer_move_begin(false), vec![Command::RedrawAll, Command::ResetCursor]);
    assert_eq!(g.phase(), Phase::Ended);
}

#[test]
fn unset_while_move_update_pending_ends_move() {
    let mut g = into_move(px(10, 0), BTN_LEFT);
    g.motion(px(12, 0), true, true);
    assert_eq!(g.phase(), Phase::AwaitMoveUpdate);
    assert_eq!(
        g.unset(),
        vec![Command::MoveEnd, Command::RedrawAll, Command::ResetCursor]
    );
    assert_eq!(g.phase(), Phase::Ended);
}

#[test]
fn unset_while_move_begin_pending_waits_for_its_answer() {
    let mut g = grab_at(0, 0, BTN_LEFT);
    g.motion(px(10, 0), true, true);
    g.answer_floating(false);
    assert_eq!(g.unset(), vec![]);
    assert_eq!(g.phase(), Phase::AwaitFinalMoveBegin);
    assert_eq!(
        g.answer_move_begin(true),
        vec![Command::MoveEnd, Command::RedrawAll, Command::ResetCursor]
    );
    assert_eq!(g.phase(), Phase::Ended);
}

#[test]
fn unset_while_floating_query_pending_balances() {
    let mut g = grab_at(0, 0, BTN_LEFT);
    g.motion(px(0, 10), true, true);
    assert_eq!(g.unset(), vec![Command::MoveBegin]);
    assert_eq!(
        g.answer_move_begin(true),
        vec![Command::MoveEnd, Command::RedrawAll, Command::ResetCursor]
    );
}

#[test]
fn refused_session_asks_for_one_begin() {
    let mut log = Vec::new();
    let mut g = grab_at(0, 0, BTN_LEFT);
    log.extend(g.motion(px(10, 1), true, true));
    log.extend(g.answer_floating(false));
    log.extend(g.answer_move_begin(false));
    log.extend(g.unset());
    assert_eq!(count(&log, Command::MoveBegin), 1);
    assert_eq!(count(&log, Command::MoveEnd), 0);
    assert_eq!(count(&log, Command::ViewOffsetBegin), 0);
}

#[test]
fn missing_placement_releases() {
    let mut g = grab_at(0, 0, BTN_LEFT);
    g.motion(px(0, 10), true, true);
    g.answer_floating(false);
    assert_eq!(g.answer_placement(false), vec![Command::Release]);
    assert_eq!(g.gesture(), GestureState::Recognizing);
}

#[test]
fn dead_window_releases() {
    let mut g = into_move(px(10, 0), BTN_LEFT);
    assert_eq!(g.motion(px(20, 0), false, true), vec![Command::Release]);
    assert_eq!(g.last_location(), px(10, 0));
}

#[test]
fn motion_off_every_output_is_dropped() {
    let mut g = into_move(px(10, 0), BTN_LEFT);
    assert_eq!(g.motion(px(50, 0), true, false), vec![]);
    assert_eq!(g.last_location(), px(10, 0));
    assert_eq!(g.phase(), Phase::Ready);
    assert_eq!(g.motion(px(12, 0), true, true), vec![Command::MoveUpdate(delta_px(2, 0))]);
}

#[test]
fn unset_while_recognizing_balances_with_begin_and_end() {
    let mut g = grab_at(0, 0, BTN_LEFT);
    g.motion(px(2, 2), true, true);
    assert_eq!(g.unset(), vec![Command::MoveBegin]);
    assert_eq!(
        g.answer_move_begin(true),
        vec![Command::MoveEnd, Command::RedrawAll, Command::ResetCursor]
    );
    assert_eq!(g.phase(), Phase::Ended);
    assert_eq!(g.unset(), vec![]);
}

#[test]
fn unset_during_view_offset_ends_it() {
    let mut g = into_view_offset(px(0, 10), BTN_LEFT);
    assert_eq!(
        g.unset(),
        vec![Command::ViewOffsetEnd, Command::RedrawAll, Command::ResetCursor]
    );
}

#[test]
fn release_of_own_button_ends_grab_in_every_gesture() {
    let mut recognizing = grab_at(0, 0, BTN_LEFT);
    let mut moving = into_move(px(10, 0), BTN_LEFT);
    let mut scrolling = into_view_offset(px(0, 10), BTN_LEFT);
    for g in [&mut recognizing, &mut moving, &mut scrolling] {
        assert_eq!(g.button(BTN_LEFT, false, &[BTN_MIDDLE]), vec![Command::Release]);
        assert_eq!(g.phase(), Phase::Releasing);
    }
}

#[test]
fn other_button_while_own_held_keeps_grab() {
    let mut g = grab_at(0, 0, BTN_LEFT);
    assert_eq!(g.button(BTN_MIDDLE, true, &[BTN_LEFT, BTN_MIDDLE]), vec![]);
    assert_eq!(g.phase(), Phase::Ready);
}

#[test]
fn paired_button_toggles_floating_during_move() {
    let mut g = into_move(px(10, 0), BTN_LEFT);
    assert_eq!(
        g.button(BTN_RIGHT, true, &[BTN_LEFT, BTN_RIGHT]),
        vec![Command::ToggleFloating]
    );
    assert!(g.is_move());
    assert_eq!(g.button(BTN_RIGHT, false, &[BTN_LEFT]), vec![]);
}

#[test]
fn right_button_grab_pairs_with_left() {
    let mut g = into_move(px(10, 0), BTN_RIGHT);
    assert_eq!(
        g.button(BTN_LEFT, true, &[BTN_RIGHT, BTN_LEFT]),
        vec![Command::ToggleFloating]
    );
}

#[test]
fn paired_button_inert_outside_move() {
    let mut recognizing = grab_at(0, 0, BTN_LEFT);
    assert_eq!(recognizing.button(BTN_RIGHT, true, &[BTN_LEFT, BTN_RIGHT]), vec![]);
    let mut scrolling = into_view_offset(px(0, 10), BTN_LEFT);
    assert_eq!(scrolling.button(BTN_RIGHT, true, &[BTN_LEFT, BTN_RIGHT]), vec![]);
}

#[test]
fn toggle_and_release_in_one_event() {
    let mut g = into_move(px(10, 0), BTN_LEFT);
    assert_eq!(
        g.button(BTN_RIGHT, true, &[BTN_RIGHT]),
        vec![Command::ToggleFloating, Command::Release]
    );
}

#[test]
fn answers_out_of_turn_are_ignored() {
    let mut g = grab_at(0, 0, BTN_LEFT);
    assert_eq!(g.answer_floating(true), vec![]);
    assert_eq!(g.answer_move_begin(true), vec![]);
    assert_eq!(g.answer_placement(true), vec![]);
    assert_eq!(g.answer_move_update(true), vec![]);
    assert_eq!(g.answer_view_offset_update(Some(true)), vec![]);
    assert_eq!(g.gesture(), GestureState::Recognizing);
    assert_eq!(g.phase(), Phase::Ready);
}

fn count(log: &[Command], c: Command) -> usize {
    log.iter().filter(|x| **x == c).count()
}

#[test]
fn move_session_begins_once_and_balances() {
    let mut log = Vec::new();
    let mut g = grab_at(0, 0, BTN_LEFT);
    log.extend(g.motion(px(3, 3), true, true));
    log.extend(g.motion(px(12, 1), true, true));
    log.extend(g.answer_floating(false));
    log.extend(g.answer_move_begin(true));
    log.extend(g.answer_move_update(true));
    log.extend(g.motion(px(20, 4), true, true));
    log.extend(g.answer_move_update(true));
    log.extend(g.button(BTN_LEFT, false, &[]));
    log.extend(g.unset());
    assert_eq!(count(&log, Command::MoveBegin), 1);
    assert_eq!(count(&log, Command::ViewOffsetBegin), 0);
    assert_eq!(count(&log, Command::MoveEnd), 1);
    assert_eq!(g.phase(), Phase::Ended);
}

#[test]
fn view_offset_session_begins_once_and_balances() {
    let mut log = Vec::new();
    let mut g = grab_at(0, 0, BTN_LEFT);
    log.extend(g.motion(px(1, 15), true, true));
    log.extend(g.answer_floating(false));
    log.extend(g.answer_placement(true));
    log.extend(g.answer_view_offset_update(Some(true)));
    log.extend(g.motion(px(4, 30), true, true));
    log.extend(g.answer_view_offset_update(Some(false)));
    log.extend(g.button(BTN_LEFT, false, &[]));
    log.extend(g.unset());
    assert_eq!(count(&log, Command::MoveBegin), 0);
    assert_eq!(count(&log, Command::ViewOffsetBegin), 1);
    assert_eq!(count(&log, Command::ViewOffsetEnd), 1);
    assert_eq!(count(&log, Command::MoveEnd), 0);
}
